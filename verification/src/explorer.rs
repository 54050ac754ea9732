//! What is asked of the block explorer's REST service, and what is kept of
//! its answers: where a package's metadata lives, and which of an account's
//! deploys touch a package.

use crate::text::{same_text, strip_prefix, without_prefix};
use vstd::prelude::*;
use vstd::string::*;

verus! {

/// A JSON value of `serde_json`, carried through unread.
#[verifier::external_type_specification]
#[verifier::external_body]
pub struct ExJsonValue(serde_json::Value);

/// A deploy as the explorer lists it.
#[derive(Debug, PartialEq)]
pub struct Transaction {
    pub deploy_hash: String,
    pub block_hash: Option<String>,
    pub block_height: Option<u64>,
    pub caller_public_key: String,
    pub execution_type_id: Option<u64>,
    pub contract_package_hash: Option<String>,
    pub contract_hash: Option<String>,
    pub entry_point_id: Option<u64>,
    pub args: Option<serde_json::Value>,
    pub payment_amount: String,
    pub cost: String,
    pub status: String,
    pub timestamp: String,
    pub error_message: Option<String>,
}

/// One page of deploys.
#[derive(Debug, PartialEq)]
pub struct TransactionsResponse {
    pub item_count: u64,
    pub page_count: u64,
    pub data: Vec<Transaction>,
}

/// The explorer's address for a network: the mainnet one for `mainnet`, the
/// testnet one for every other name.
pub fn metadata_endpoint<'a>(network: &str, mainnet: &'a str, testnet: &'a str) -> (r: &'a str)
    ensures
        r@ == if network@ == "mainnet"@ {
            mainnet@
        } else {
            testnet@
        },
{
    if same_text(network, "mainnet") {
        mainnet
    } else {
        testnet
    }
}

/// The explorer's address for a network where only the two public networks
/// will do.
pub fn deploys_endpoint<'a>(network: &str, mainnet: &'a str, testnet: &'a str) -> (r: Option<
    &'a str,
>)
    ensures
        match r {
            Some(e) => (network@ == "mainnet"@ && e@ == mainnet@) || (network@ != "mainnet"@
                && network@ == "testnet"@ && e@ == testnet@),
            None => network@ != "mainnet"@ && network@ != "testnet"@,
        },
{
    if same_text(network, "mainnet") {
        Some(mainnet)
    } else if same_text(network, "testnet") {
        Some(testnet)
    } else {
        None
    }
}

/// Where the metadata of the package `hash` is found.
pub fn contract_package_metadata_url(endpoint: &str, hash: &str, includes: &str) -> (url: String)
    ensures
        url@ == endpoint@ + "/contract-packages/"@ + hash@ + "?includes="@ + includes@,
{
    let mut url = String::from_str(endpoint);
    url.append("/contract-packages/");
    url.append(hash);
    url.append("?includes=");
    url.append(includes);
    url
}

/// Where the deploys of the account `owner_public_key` are found, a hundred
/// at most.
pub fn account_deploys_url(endpoint: &str, owner_public_key: &str) -> (url: String)
    ensures
        url@ == endpoint@ + "/accounts/"@ + owner_public_key@ + "/deploys?limit=100"@,
{
    let mut url = String::from_str(endpoint);
    url.append("/accounts/");
    url.append(owner_public_key);
    url.append("/deploys?limit=100");
    url
}

/// What is reported when the explorer does not give the metadata of `hash`:
/// that the package is not there where the status is 404, that something went
/// wrong otherwise.
pub fn metadata_failure(status: u16, hash: &str) -> (message: String)
    ensures
        message@ == if status == 404 {
            "Contract package "@ + hash@ + " not found"@
        } else {
            "Error while fetching contract package "@ + hash@
        },
{
    if status == 404 {
        let mut message = String::from_str("Contract package ");
        message.append(hash);
        message.append(" not found");
        message
    } else {
        let mut message = String::from_str("Error while fetching contract package ");
        message.append(hash);
        message
    }
}

/// A package reference as the explorer writes it: without the prefix `hash-`.
pub open spec fn raw_package_hash(package_hash: Seq<char>) -> Seq<char> {
    match without_prefix(package_hash, "hash-"@) {
        Some(rest) => rest,
        None => package_hash,
    }
}

/// The deploy names the package `raw` as the one it called.
pub open spec fn touches(transaction: Transaction, raw: Seq<char>) -> bool {
    transaction.contract_package_hash matches Some(hash) && hash@ == raw
}

/// Keeps the deploys that call the package `package_hash`, in their order.
pub fn get_contract_transactions(transactions: Vec<Transaction>, package_hash: &str) -> (r: Vec<
    Transaction,
>)
    ensures
        r@ == transactions@.filter(|t: Transaction| touches(t, raw_package_hash(package_hash@))),
{
    let target = match strip_prefix(package_hash, "hash-") {
        Some(rest) => rest,
        None => package_hash,
    };
    let ghost wanted = |t: Transaction| touches(t, raw_package_hash(package_hash@));
    let mut rest = transactions;
    let mut kept: Vec<Transaction> = Vec::new();
    let ghost mut seen: int = 0;
    proof {
        reveal(Seq::filter);
        assert(transactions@.take(0) =~= Seq::<Transaction>::empty());
        assert(transactions@.skip(0) =~= transactions@);
    }
    while rest.len() > 0
        invariant
            0 <= seen <= transactions@.len(),
            rest@ == transactions@.skip(seen),
            kept@ == transactions@.take(seen).filter(wanted),
            target@ == raw_package_hash(package_hash@),
            wanted == (|t: Transaction| touches(t, raw_package_hash(package_hash@))),
        decreases rest.len(),
    {
        let transaction = rest.remove(0);
        proof {
            reveal(Seq::filter);
            let next = transactions@.take(seen + 1);
            assert(next.drop_last() =~= transactions@.take(seen));
            assert(next.last() == transaction);
            assert(rest@ =~= transactions@.skip(seen + 1));
            seen = seen + 1;
        }
        let keep = match &transaction.contract_package_hash {
            Some(hash) => same_text(hash.as_str(), target),
            None => false,
        };
        if keep {
            kept.push(transaction);
        }
    }
    assert(transactions@.take(seen) =~= transactions@);
    kept
}

} // verus!
